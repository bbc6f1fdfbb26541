//! Drawing the value.
//!
//! The uniform draw takes integers and gives one, and is made here, by `rand`.
//! The normal and the Bernoulli draw take doubles; they are made by the caller,
//! and this module turns what they gave into the value of the response.

use crate::double::{Double, ONE_BITS};
use vstd::prelude::*;

verus! {

/// The answer to a request: the value that was drawn.
#[derive(Clone, Copy, Debug, PartialEq, Eq, Structural)]
pub struct RngResponse {
    pub value: Double,
}

/// `rand::Rng::sample` on the generator of the current thread, with the
/// distribution that `rand::distributions::Uniform::from` makes of the range
/// `start..end`.
///
/// Trusted: the value lies in the range, its end excluded. Which of them it is
/// is a matter of chance. An empty range is left out: `rand` panics on it.
#[verifier::external_body]
fn draw_uniform(start: i32, end: i32) -> (r: i32)
    requires
        start < end,
    ensures
        start <= r < end,
{
    rand::Rng::sample(&mut rand::thread_rng(), rand::distributions::Uniform::from(start..end))
}

impl RngResponse {
    /// The response to a uniform request, for the integer that was drawn: the
    /// integer as a double.
    pub fn whole(drawn: i32) -> (r: RngResponse)
        ensures
            r.value.represents(drawn as int),
    {
        RngResponse { value: Double::from_i32(drawn) }
    }

    /// The response to a Bernoulli request: `1.0` for a success, `0.0`
    /// otherwise.
    pub fn flag(success: bool) -> (r: RngResponse)
        ensures
            r.value.bits == (if success {
                ONE_BITS
            } else {
                0
            }),
            r.value.represents(
                if success {
                    1
                } else {
                    0
                },
            ),
    {
        if success {
            proof {
                Double::lemma_one();
            }
            RngResponse { value: Double { bits: ONE_BITS } }
        } else {
            RngResponse { value: Double { bits: 0 } }
        }
    }
}

/// The value is an integer from `start` up to, and not including, `end`.
pub open spec fn whole_within(value: Double, start: int, end: int) -> bool {
    exists|drawn: int| start <= drawn < end && #[trigger] value.represents(drawn)
}

/// Draws one integer from `start` up to, and not including, `end`, each with
/// the same chance, and gives it as the value of a response.
pub fn sample_uniform(start: i32, end: i32) -> (r: RngResponse)
    requires
        start < end,
    ensures
        whole_within(r.value, start as int, end as int),
{
    let drawn = draw_uniform(start, end);
    let response = RngResponse::whole(drawn);
    assert(start <= drawn < end && response.value.represents(drawn as int));
    response
}

} // verus!
