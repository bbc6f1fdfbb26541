//! The handler, as a sequence of steps.
//!
//! [`handle`] takes a request as far as it can be taken without a double in
//! hand: it routes, decodes, and draws where the draw is one of integers. What
//! is left is work on doubles, which the caller does: a normal or a Bernoulli
//! draw, and writing the value as JSON. After each piece of it the caller
//! hands the outcome to [`resume`], until the step is a [`Step::Reply`].
//!
//! What the caller hands back is not taken on trust. A draw that is not
//! finite, and a text that is no JSON number, end in status 500: a response
//! with status 200 to a `POST /random` always holds a number.

use crate::double::{Double, ONE_BITS};
use crate::http::{
    json_number, route, route_of, value_object, HttpOutcome, Method, Route, INDEX,
    INTERNAL_SERVER_ERROR, NOT_FOUND, OK, UNPROCESSABLE_ENTITY,
};
use crate::json::parsed;
use crate::request::{decode, decode_parsed, RngRequest};
use crate::sampler::{sample_uniform, whole_within, RngResponse};
use vstd::prelude::*;
use vstd::string::StringSliceAdditionalSpecFns;
use vstd::utf8::encode_utf8;

verus! {

/// How far the handling of a request has come.
#[derive(Debug, PartialEq, Eq)]
pub enum Step {
    /// The response stands.
    Reply(HttpOutcome),
    /// The value is drawn, and is to be written as a JSON number.
    Encode(RngResponse),
    /// A value is to be drawn from the normal distribution with this mean and
    /// standard deviation. The standard deviation is not negative.
    DrawNormal { mean: Double, std_dev: Double },
    /// A Bernoulli trial with this probability of success is to be made. The
    /// probability lies between zero and one.
    DrawBernoulli { p: Double },
}

/// What the caller did for a step.
#[derive(Debug, PartialEq, Eq)]
pub enum Event {
    /// The value that the normal draw gave.
    Normal(Double),
    /// Whether the Bernoulli trial succeeded.
    Bernoulli(bool),
    /// What the encoder made of the value: its text, or the encoder's
    /// description of why it could not be written. The text is looked at
    /// before it is sent: see [`resume`].
    Encoded(Result<String, String>),
}

/// The step that a valid request is taken to.
pub open spec fn begins(request: RngRequest, step: Step) -> bool {
    match request {
        RngRequest::Uniform { start, end } => step matches Step::Encode(response)
            && whole_within(response.value, start as int, end as int),
        RngRequest::Normal { mean, std_dev } => step == (Step::DrawNormal { mean, std_dev }),
        RngRequest::Bernoulli { p } => step == (Step::DrawBernoulli { p }),
    }
}

/// Takes a valid request to its first step: the uniform draw is made, the
/// other two are asked for.
pub fn begin(request: RngRequest) -> (step: Step)
    requires
        request.valid(),
    ensures
        begins(request, step),
{
    match request {
        RngRequest::Uniform { start, end } => Step::Encode(sample_uniform(start, end)),
        RngRequest::Normal { mean, std_dev } => Step::DrawNormal { mean, std_dev },
        RngRequest::Bernoulli { p } => Step::DrawBernoulli { p },
    }
}

/// What `handle` makes of a request: the greeting, the refusal of a route or
/// of a body, the first step of a valid request, or nothing where the
/// parameters are outside the domain of the distribution.
pub open spec fn handled(method: Method, path: Seq<char>, body: Seq<u8>, r: Option<Step>) -> bool {
    match route_of(method, path) {
        Route::Index => r matches Some(Step::Reply(outcome)) && outcome.status == OK
            && outcome.body@ == INDEX.spec_bytes(),
        Route::NotFound => r matches Some(Step::Reply(outcome)) && outcome.status == NOT_FOUND
            && outcome.body@.len() == 0,
        Route::Random => match decode_parsed(parsed(body)) {
            Err(error) => r matches Some(Step::Reply(outcome)) && outcome.status
                == UNPROCESSABLE_ENTITY && outcome.body@ == encode_utf8(error.message()),
            Ok(request) => if request.valid() {
                r matches Some(step) && begins(request, step)
            } else {
                r is None
            },
        },
    }
}

/// Handles a request, given its method, its path and the whole of its body.
///
/// `GET /` and `GET /random` are greeted. `POST /random` has its body decoded:
/// a body that is no request is answered with status 422 and the reason; a
/// request is taken to its first step. Every other pair of method and path is
/// answered with status 404 and no body.
///
/// The result is `None` for a request whose parameters are not ones that its
/// distribution is defined for, and for nothing else. No value can be drawn
/// for such a request, and no response is laid down for it.
pub fn handle(method: Method, path: &str, body: &[u8]) -> (r: Option<Step>)
    ensures
        handled(method, path@, body@, r),
{
    match route(method, path) {
        Route::Index => Some(Step::Reply(HttpOutcome::index())),
        Route::NotFound => Some(Step::Reply(HttpOutcome::not_found())),
        Route::Random => match decode(body) {
            Err(error) => Some(Step::Reply(HttpOutcome::unprocessable(&error))),
            Ok(request) => if request.is_valid() {
                Some(begin(request))
            } else {
                None
            },
        },
    }
}

/// The step that follows when the caller has done what a step asked for.
pub open spec fn follows(step: Step, event: Event, next: Step) -> bool {
    match (step, event) {
        (Step::DrawNormal { .. }, Event::Normal(value)) => if value.finite() {
            next == Step::Encode(RngResponse { value })
        } else {
            next matches Step::Reply(outcome) && outcome.carries_no_number()
        },
        (Step::DrawBernoulli { .. }, Event::Bernoulli(success)) => next == Step::Encode(
            RngResponse { value: Double { bits: if success { ONE_BITS } else { 0 } } },
        ),
        (Step::Encode(_), Event::Encoded(Ok(number))) => if json_number(number@) {
            next matches Step::Reply(outcome) && outcome.carries(number@)
        } else {
            next matches Step::Reply(outcome) && outcome.carries_no_number()
        },
        (Step::Encode(_), Event::Encoded(Err(message))) => next matches Step::Reply(outcome)
            && outcome.status == INTERNAL_SERVER_ERROR && outcome.body@ == encode_utf8(message@),
        _ => next == step,
    }
}

/// Goes on from a step with what the caller did for it.
///
/// A normal draw gives the value as it is, if it is finite. A Bernoulli trial
/// gives `1.0` for a success and `0.0` otherwise. An encoded value gives the
/// response: status 200 and the object that holds the number, or, where the
/// encoder failed, status 500 and its description.
///
/// A response with status 200 holds a number. A draw that is infinite or no
/// number, and a text from the encoder that is no JSON number (`null`, which
/// encoders write for such a value, is none), are answered with status 500
/// and the words of `NOT_A_NUMBER`.
///
/// An event that is not the one the step asked for leaves the step as it is.
pub fn resume(step: Step, event: Event) -> (next: Step)
    ensures
        follows(step, event, next),
{
    match (step, event) {
        (Step::DrawNormal { .. }, Event::Normal(value)) => if value.is_finite() {
            Step::Encode(RngResponse { value })
        } else {
            Step::Reply(HttpOutcome::not_a_number())
        },
        (Step::DrawBernoulli { .. }, Event::Bernoulli(success)) => Step::Encode(
            RngResponse::flag(success),
        ),
        (Step::Encode(_), Event::Encoded(Ok(number))) => Step::Reply(
            HttpOutcome::value(number.as_str()),
        ),
        (Step::Encode(_), Event::Encoded(Err(message))) => Step::Reply(
            HttpOutcome::encoder_failed(message.as_str()),
        ),
        (step, _) => step,
    }
}

} // verus!


verus! {

/// The number of things that are left for the caller to do.
pub open spec fn remaining(step: Step) -> nat {
    match step {
        Step::Reply(_) => 0,
        Step::Encode(_) => 1,
        Step::DrawNormal { .. } | Step::DrawBernoulli { .. } => 2,
    }
}

/// The event is the outcome of what the step asks for.
pub open spec fn awaited(step: Step, event: Event) -> bool {
    match (step, event) {
        (Step::DrawNormal { .. }, Event::Normal(_)) => true,
        (Step::DrawBernoulli { .. }, Event::Bernoulli(_)) => true,
        (Step::Encode(_), Event::Encoded(_)) => true,
        _ => false,
    }
}

/// The event that a step asks for takes it nearer to the reply, so that no
/// request needs more than two. Any other event changes nothing.
pub proof fn lemma_resume_advances(step: Step, event: Event, next: Step)
    requires
        follows(step, event, next),
    ensures
        awaited(step, event) ==> remaining(next) < remaining(step),
        !awaited(step, event) ==> next == step,
{
}

/// The step is no response with status 200, or it is one whose body is the
/// object that holds a JSON number: its one member, `value`, is never `null`,
/// a string or anything else that is not a number.
pub open spec fn success_holds_a_number(step: Step) -> bool {
    step matches Step::Reply(outcome) ==> outcome.status == OK ==> exists|number: Seq<char>| #[trigger]
        json_number(number) && outcome.body@ == encode_utf8(value_object(number))
}

/// What `handle` makes of a `POST /random` is no response with status 200:
/// the route answers with 422 at once or not yet.
pub proof fn lemma_handle_holds_a_number(
    method: Method,
    path: Seq<char>,
    body: Seq<u8>,
    step: Step,
)
    requires
        route_of(method, path) == Route::Random,
        handled(method, path, body, Some(step)),
    ensures
        !(step matches Step::Reply(outcome) && outcome.status == OK),
        success_holds_a_number(step),
{
}

/// `resume` keeps it so: whatever the caller hands back, and however often,
/// a response with status 200 to a `POST /random` holds a JSON number.
pub proof fn lemma_resume_holds_a_number(step: Step, event: Event, next: Step)
    requires
        success_holds_a_number(step),
        follows(step, event, next),
    ensures
        success_holds_a_number(next),
{
    match (step, event) {
        (Step::Encode(_), Event::Encoded(Ok(number))) => {
            if json_number(number@) {
                assert(json_number(number@) && next->Reply_0.body@ == encode_utf8(
                    value_object(number@),
                ));
            }
        },
        _ => {},
    }
}

/// A response with status 200 that `resume` arrives at from a step that is
/// no response holds a JSON number.
pub proof fn lemma_success_holds_a_number(step: Step, event: Event, next: Step)
    requires
        follows(step, event, next),
        !(step is Reply),
        next matches Step::Reply(outcome) && outcome.status == OK,
    ensures
        next matches Step::Reply(outcome) && exists|number: Seq<char>| #[trigger]
            json_number(number) && outcome.body@ == encode_utf8(value_object(number)),
{
    lemma_resume_holds_a_number(step, event, next);
}

/// A draw that is not finite is answered with status 500, whatever the
/// parameters were.
pub proof fn lemma_infinite_draw_is_refused(step: Step, value: Double, next: Step)
    requires
        step is DrawNormal,
        !value.finite(),
        follows(step, Event::Normal(value), next),
    ensures
        next matches Step::Reply(outcome) && outcome.status == INTERNAL_SERVER_ERROR,
{
}

/// The request that `handle` takes to a draw is one that the draw is defined
/// for: the standard deviation is not negative, the probability lies between
/// zero and one.
pub proof fn lemma_draw_is_defined(request: RngRequest, step: Step)
    requires
        request.valid(),
        begins(request, step),
    ensures
        step matches Step::DrawNormal { std_dev, .. } ==> std_dev.at_least_zero(),
        step matches Step::DrawBernoulli { p } ==> p.within_unit(),
        !(step is Reply),
{
}

/// The value that a Bernoulli trial leads to is the whole number one for a
/// success and zero otherwise: `1.0` or `0.0`, and nothing between.
pub proof fn lemma_trial_value(step: Step, success: bool, next: Step)
    requires
        step is DrawBernoulli,
        follows(step, Event::Bernoulli(success), next),
    ensures
        next matches Step::Encode(response) && response.value.represents(
            if success {
                1
            } else {
                0
            },
        ),
{
    Double::lemma_one();
}

} // verus!
