//! The distribution request: what the body of a `POST /random` has to hold,
//! and how it is read out of a JSON document.
//!
//! A request is a JSON object with the name of a distribution under
//! `distribution` and that distribution's parameters, an object of its own,
//! under `parameters`:
//!
//! ```text
//! {"distribution": "uniform",   "parameters": {"start": 0, "end": 10}}
//! {"distribution": "normal",    "parameters": {"mean": 0.0, "std_dev": 1.0}}
//! {"distribution": "bernoulli", "parameters": {"p": 0.5}}
//! ```
//!
//! Decoding reads the name first and the parameters that belong to it second.
//! It checks the shape only. Whether the parameters are ones that a sampler
//! accepts is a separate question, answered by [`RngRequest::is_valid`].

use crate::double::Double;
use crate::json::{
    as_double, as_integer, as_text, describe, is_object, json_content, member, parsed,
    read_value, Json,
};
use crate::text::str_eq;
use vstd::prelude::*;
use vstd::string::StringExecFns;

verus! {

/// A key of the request.
#[derive(Clone, Copy, Debug, PartialEq, Eq, Structural)]
pub enum Field {
    Distribution,
    Parameters,
    Start,
    End,
    Mean,
    StdDev,
    P,
}

/// A family of distributions.
#[derive(Clone, Copy, Debug, PartialEq, Eq, Structural)]
pub enum Distribution {
    Uniform,
    Normal,
    Bernoulli,
}

/// A request for one value.
#[derive(Clone, Copy, Debug, PartialEq, Eq, Structural)]
pub enum RngRequest {
    /// An integer from `start` up to, and not including, `end`.
    Uniform { start: i32, end: i32 },
    /// A number from the normal distribution with this mean and standard
    /// deviation.
    Normal { mean: Double, std_dev: Double },
    /// One with probability `p`, else zero.
    Bernoulli { p: Double },
}

/// Why a body is no request.
#[derive(Clone, Debug, PartialEq, Eq)]
pub enum DecodeError {
    /// The body is not JSON. Holds the parser's own description.
    Syntax(String),
    /// The body is JSON, but no object.
    NotAnObject,
    /// The key is absent.
    Missing(Field),
    /// The key is there, and what stands under it is not of the type the key
    /// calls for.
    Mismatch(Field),
    /// The name under `distribution` is that of no distribution. Holds the name.
    UnknownDistribution(String),
}

/// A [`DecodeError`] with its strings as sequences of characters.
pub enum DecodeErrorView {
    Syntax(Seq<char>),
    NotAnObject,
    Missing(Field),
    Mismatch(Field),
    UnknownDistribution(Seq<char>),
}

impl View for DecodeError {
    type V = DecodeErrorView;

    open spec fn view(&self) -> DecodeErrorView {
        match self {
            DecodeError::Syntax(text) => DecodeErrorView::Syntax(text@),
            DecodeError::NotAnObject => DecodeErrorView::NotAnObject,
            DecodeError::Missing(field) => DecodeErrorView::Missing(*field),
            DecodeError::Mismatch(field) => DecodeErrorView::Mismatch(*field),
            DecodeError::UnknownDistribution(name) => DecodeErrorView::UnknownDistribution(name@),
        }
    }
}

/// A result of decoding with its error seen through its view.
pub open spec fn outcome_view<T>(outcome: Result<T, DecodeError>) -> Result<T, DecodeErrorView> {
    match outcome {
        Ok(value) => Ok(value),
        Err(error) => Err(error@),
    }
}

impl Field {
    /// The key as it is written in a request.
    pub open spec fn key(self) -> Seq<char> {
        match self {
            Field::Distribution => "distribution"@,
            Field::Parameters => "parameters"@,
            Field::Start => "start"@,
            Field::End => "end"@,
            Field::Mean => "mean"@,
            Field::StdDev => "std_dev"@,
            Field::P => "p"@,
        }
    }

    /// What has to stand under the key, in words.
    pub open spec fn expectation(self) -> Seq<char> {
        match self {
            Field::Distribution => "a string"@,
            Field::Parameters => "an object"@,
            Field::Start | Field::End => "a 32-bit integer"@,
            Field::Mean | Field::StdDev | Field::P => "a number"@,
        }
    }

    /// The key as it is written in a request.
    pub fn name(self) -> (r: &'static str)
        ensures
            r@ == self.key(),
    {
        match self {
            Field::Distribution => "distribution",
            Field::Parameters => "parameters",
            Field::Start => "start",
            Field::End => "end",
            Field::Mean => "mean",
            Field::StdDev => "std_dev",
            Field::P => "p",
        }
    }

    /// What has to stand under the key, in words.
    pub fn expected(self) -> (r: &'static str)
        ensures
            r@ == self.expectation(),
    {
        match self {
            Field::Distribution => "a string",
            Field::Parameters => "an object",
            Field::Start | Field::End => "a 32-bit integer",
            Field::Mean | Field::StdDev | Field::P => "a number",
        }
    }
}

impl Distribution {
    /// The distribution that a name stands for. Names are lower case and are
    /// matched exactly.
    pub open spec fn named(name: Seq<char>) -> Option<Distribution> {
        if name == "uniform"@ {
            Some(Distribution::Uniform)
        } else if name == "normal"@ {
            Some(Distribution::Normal)
        } else if name == "bernoulli"@ {
            Some(Distribution::Bernoulli)
        } else {
            None
        }
    }

    /// Finds the distribution that a name stands for.
    pub fn from_name(name: &str) -> (r: Option<Distribution>)
        ensures
            r == Distribution::named(name@),
    {
        if str_eq(name, "uniform") {
            Some(Distribution::Uniform)
        } else if str_eq(name, "normal") {
            Some(Distribution::Normal)
        } else if str_eq(name, "bernoulli") {
            Some(Distribution::Bernoulli)
        } else {
            None
        }
    }
}

impl DecodeErrorView {
    /// The error in words, as it goes into the body of a response. A body
    /// that is not JSON is described in the parser's words, or, should the
    /// parser have none, as malformed.
    pub open spec fn message(self) -> Seq<char> {
        match self {
            DecodeErrorView::Syntax(text) => if text.len() == 0 {
                "malformed JSON"@
            } else {
                text
            },
            DecodeErrorView::NotAnObject => "expected a JSON object"@,
            DecodeErrorView::Missing(field) => "missing field `"@ + field.key() + "`"@,
            DecodeErrorView::Mismatch(field) => "invalid field `"@ + field.key() + "`: expected "@
                + field.expectation(),
            DecodeErrorView::UnknownDistribution(name) => "unknown variant `"@ + name
                + "`, expected one of `uniform`, `normal`, `bernoulli`"@,
        }
    }
}

impl DecodeError {
    /// The error in words, as it goes into the body of a response.
    pub fn message(&self) -> (r: String)
        ensures
            r@ == self@.message(),
    {
        match self {
            DecodeError::Syntax(text) => if text.as_str().is_empty() {
                String::from_str("malformed JSON")
            } else {
                text.clone()
            },
            DecodeError::NotAnObject => String::from_str("expected a JSON object"),
            DecodeError::Missing(field) => {
                let mut text = String::from_str("missing field `");
                text.append(field.name());
                text.append("`");
                text
            },
            DecodeError::Mismatch(field) => {
                let mut text = String::from_str("invalid field `");
                text.append(field.name());
                text.append("`: expected ");
                text.append(field.expected());
                text
            },
            DecodeError::UnknownDistribution(name) => {
                let mut text = String::from_str("unknown variant `");
                text.append(name.as_str());
                text.append("`, expected one of `uniform`, `normal`, `bernoulli`");
                text
            },
        }
    }
}

/// The 32-bit integer under a key of the parameters.
pub open spec fn integer_in(parameters: Map<Seq<char>, Json>, field: Field) -> Result<
    i32,
    DecodeErrorView,
> {
    if !parameters.contains_key(field.key()) {
        Err(DecodeErrorView::Missing(field))
    } else {
        match parameters[field.key()] {
            Json::Number(number) => match number.integer {
                Some(n) if i32::MIN <= n <= i32::MAX => Ok(n as i32),
                _ => Err(DecodeErrorView::Mismatch(field)),
            },
            _ => Err(DecodeErrorView::Mismatch(field)),
        }
    }
}

/// The number under a key of the parameters, read as a double. A number
/// written as an integer is one as well.
pub open spec fn double_in(parameters: Map<Seq<char>, Json>, field: Field) -> Result<
    Double,
    DecodeErrorView,
> {
    if !parameters.contains_key(field.key()) {
        Err(DecodeErrorView::Missing(field))
    } else {
        match parameters[field.key()] {
            Json::Number(number) => Ok(number.real),
            _ => Err(DecodeErrorView::Mismatch(field)),
        }
    }
}

/// The request that the parameters make for a distribution. The keys are read
/// in the order in which the request's variant lists them, and the first that
/// fails decides the error. Keys that the distribution does not use are
/// passed over.
pub open spec fn decode_parameters(
    distribution: Distribution,
    parameters: Map<Seq<char>, Json>,
) -> Result<RngRequest, DecodeErrorView> {
    match distribution {
        Distribution::Uniform => match integer_in(parameters, Field::Start) {
            Err(error) => Err(error),
            Ok(start) => match integer_in(parameters, Field::End) {
                Err(error) => Err(error),
                Ok(end) => Ok(RngRequest::Uniform { start, end }),
            },
        },
        Distribution::Normal => match double_in(parameters, Field::Mean) {
            Err(error) => Err(error),
            Ok(mean) => match double_in(parameters, Field::StdDev) {
                Err(error) => Err(error),
                Ok(std_dev) => Ok(RngRequest::Normal { mean, std_dev }),
            },
        },
        Distribution::Bernoulli => match double_in(parameters, Field::P) {
            Err(error) => Err(error),
            Ok(p) => Ok(RngRequest::Bernoulli { p }),
        },
    }
}

/// The request that a document makes.
pub open spec fn decode_document(document: Json) -> Result<RngRequest, DecodeErrorView> {
    match document {
        Json::Object(members) => if !members.contains_key(Field::Distribution.key()) {
            Err(DecodeErrorView::Missing(Field::Distribution))
        } else {
            match members[Field::Distribution.key()] {
                Json::Text(name) => match Distribution::named(name) {
                    None => Err(DecodeErrorView::UnknownDistribution(name)),
                    Some(distribution) => if !members.contains_key(Field::Parameters.key()) {
                        Err(DecodeErrorView::Missing(Field::Parameters))
                    } else {
                        match members[Field::Parameters.key()] {
                            Json::Object(parameters) => decode_parameters(
                                distribution,
                                parameters,
                            ),
                            _ => Err(DecodeErrorView::Mismatch(Field::Parameters)),
                        }
                    },
                },
                _ => Err(DecodeErrorView::Mismatch(Field::Distribution)),
            }
        },
        _ => Err(DecodeErrorView::NotAnObject),
    }
}

/// The request that a parsed body makes.
pub open spec fn decode_parsed(outcome: Result<Json, Seq<char>>) -> Result<
    RngRequest,
    DecodeErrorView,
> {
    match outcome {
        Ok(document) => decode_document(document),
        Err(text) => Err(DecodeErrorView::Syntax(text)),
    }
}

fn integer_field(parameters: &serde_json::Value, field: Field) -> (r: Result<i32, DecodeError>)
    requires
        json_content(*parameters) is Object,
    ensures
        json_content(*parameters) matches Json::Object(members) && outcome_view(r) == integer_in(
            members,
            field,
        ),
{
    match member(parameters, field.name()) {
        None => Err(DecodeError::Missing(field)),
        Some(value) => match as_integer(value) {
            Some(n) => if -0x8000_0000 <= n && n <= 0x7fff_ffff {
                Ok(n as i32)
            } else {
                Err(DecodeError::Mismatch(field))
            },
            None => Err(DecodeError::Mismatch(field)),
        },
    }
}

fn double_field(parameters: &serde_json::Value, field: Field) -> (r: Result<Double, DecodeError>)
    requires
        json_content(*parameters) is Object,
    ensures
        json_content(*parameters) matches Json::Object(members) && outcome_view(r) == double_in(
            members,
            field,
        ),
{
    match member(parameters, field.name()) {
        None => Err(DecodeError::Missing(field)),
        Some(value) => match as_double(value) {
            Some(number) => Ok(number),
            None => Err(DecodeError::Mismatch(field)),
        },
    }
}

fn read_parameters(distribution: Distribution, parameters: &serde_json::Value) -> (r: Result<
    RngRequest,
    DecodeError,
>)
    requires
        json_content(*parameters) is Object,
    ensures
        json_content(*parameters) matches Json::Object(members) && outcome_view(r)
            == decode_parameters(distribution, members),
{
    match distribution {
        Distribution::Uniform => {
            let start = match integer_field(parameters, Field::Start) {
                Ok(start) => start,
                Err(error) => return Err(error),
            };
            let end = match integer_field(parameters, Field::End) {
                Ok(end) => end,
                Err(error) => return Err(error),
            };
            Ok(RngRequest::Uniform { start, end })
        },
        Distribution::Normal => {
            let mean = match double_field(parameters, Field::Mean) {
                Ok(mean) => mean,
                Err(error) => return Err(error),
            };
            let std_dev = match double_field(parameters, Field::StdDev) {
                Ok(std_dev) => std_dev,
                Err(error) => return Err(error),
            };
            Ok(RngRequest::Normal { mean, std_dev })
        },
        Distribution::Bernoulli => {
            match double_field(parameters, Field::P) {
                Ok(p) => Ok(RngRequest::Bernoulli { p }),
                Err(error) => Err(error),
            }
        },
    }
}

/// Reads a request out of a parsed document: first the name of the
/// distribution, then the parameters that belong to it.
pub fn decode_value(document: &serde_json::Value) -> (r: Result<RngRequest, DecodeError>)
    ensures
        outcome_view(r) == decode_document(json_content(*document)),
{
    if !is_object(document) {
        return Err(DecodeError::NotAnObject);
    }
    let tag = match member(document, Field::Distribution.name()) {
        Some(tag) => tag,
        None => return Err(DecodeError::Missing(Field::Distribution)),
    };
    let name = match as_text(tag) {
        Some(name) => name,
        None => return Err(DecodeError::Mismatch(Field::Distribution)),
    };
    let distribution = match Distribution::from_name(name) {
        Some(distribution) => distribution,
        None => return Err(DecodeError::UnknownDistribution(name.to_owned())),
    };
    let parameters = match member(document, Field::Parameters.name()) {
        Some(parameters) => parameters,
        None => return Err(DecodeError::Missing(Field::Parameters)),
    };
    if !is_object(parameters) {
        return Err(DecodeError::Mismatch(Field::Parameters));
    }
    read_parameters(distribution, parameters)
}

/// Reads a request out of the bytes of a body.
///
/// The body is parsed as a whole, then the document is decoded: the result is
/// what `decode_parsed` makes of the parser's outcome.
pub fn decode(body: &[u8]) -> (r: Result<RngRequest, DecodeError>)
    ensures
        outcome_view(r) == decode_parsed(parsed(body@)),
{
    match read_value(body) {
        Ok(document) => decode_value(&document),
        Err(error) => Err(DecodeError::Syntax(describe(&error))),
    }
}

/// The distribution that a request is for.
pub open spec fn distribution_of(request: RngRequest) -> Distribution {
    match request {
        RngRequest::Uniform { .. } => Distribution::Uniform,
        RngRequest::Normal { .. } => Distribution::Normal,
        RngRequest::Bernoulli { .. } => Distribution::Bernoulli,
    }
}

/// A document that decodes is an object that names a distribution, and the
/// request is for the distribution that it names.
pub proof fn lemma_decoded_as_named(document: Json, request: RngRequest)
    requires
        decode_document(document) == Ok::<RngRequest, DecodeErrorView>(request),
    ensures
        ({
            &&& document matches Json::Object(members)
            &&& members.contains_key("distribution"@)
            &&& members["distribution"@] matches Json::Text(name)
            &&& Distribution::named(name) == Some(distribution_of(request))
        }),
{
}

/// An object whose `distribution` is a string that names no distribution is
/// refused with that string, whatever else it holds.
pub proof fn lemma_unknown_name_refused(members: Map<Seq<char>, Json>, name: Seq<char>)
    requires
        members.contains_key("distribution"@),
        members["distribution"@] == Json::Text(name),
        name != "uniform"@,
        name != "normal"@,
        name != "bernoulli"@,
    ensures
        decode_document(Json::Object(members)) == Err::<RngRequest, DecodeErrorView>(
            DecodeErrorView::UnknownDistribution(name),
        ),
{
}

/// Every error has something to say.
pub proof fn lemma_message_not_empty(error: DecodeErrorView)
    ensures
        error.message().len() > 0,
{
    reveal_strlit("malformed JSON");
    reveal_strlit("expected a JSON object");
    reveal_strlit("missing field `");
    reveal_strlit("invalid field `");
    reveal_strlit("unknown variant `");
}

impl RngRequest {
    /// The parameters are ones that the distribution is defined for: a range
    /// that is not empty, a standard deviation that is not negative, a
    /// probability between zero and one.
    pub open spec fn valid(self) -> bool {
        match self {
            RngRequest::Uniform { start, end } => start < end,
            RngRequest::Normal { mean, std_dev } => std_dev.at_least_zero(),
            RngRequest::Bernoulli { p } => p.within_unit(),
        }
    }

    /// Whether the parameters are ones that the distribution is defined for.
    pub fn is_valid(&self) -> (r: bool)
        ensures
            r == self.valid(),
    {
        match self {
            RngRequest::Uniform { start, end } => *start < *end,
            RngRequest::Normal { mean, std_dev } => std_dev.is_at_least_zero(),
            RngRequest::Bernoulli { p } => p.is_within_unit(),
        }
    }
}

} // verus!
